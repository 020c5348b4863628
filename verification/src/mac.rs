//! Mac level commands.
//!
//! Either sent as a FRMPayload with FPort = 0 or piggybacked in the FOpts
//! field. Piggybacked commands are always unencrypted, as FRMPayload is
//! always encrypted.
//!
//! The payload of a command is a few bytes of packed fields. Each type here
//! holds those bytes as one little-endian number, `value`, and reads its
//! fields out of it: the first field sits in the lowest bits.
use vstd::prelude::*;

verus! {

/// The identifier of a MAC command, which is the first byte of the command.
#[derive(Debug, Clone, Copy, PartialEq, Eq, Structural)]
pub enum MacCommandCid {
    /// LinkCheckReq, LinkCheckAns
    LinkCheck,
    /// LinkADRReq, LinkADRAns
    LinkAdr,
    DutyCycle,
    RxParamSetup,
    DevStatus,
    NewChannel,
    RxTimingSetup,
    TxParamSetup,
    DlChannel,
    DeviceTime,
}

impl MacCommandCid {
    /// The byte that stands for the command.
    pub open spec fn spec_cid(&self) -> u8 {
        match *self {
            MacCommandCid::LinkCheck => 0x02,
            MacCommandCid::LinkAdr => 0x03,
            MacCommandCid::DutyCycle => 0x04,
            MacCommandCid::RxParamSetup => 0x05,
            MacCommandCid::DevStatus => 0x06,
            MacCommandCid::NewChannel => 0x07,
            MacCommandCid::RxTimingSetup => 0x08,
            MacCommandCid::TxParamSetup => 0x09,
            MacCommandCid::DlChannel => 0x0A,
            MacCommandCid::DeviceTime => 0x0D,
        }
    }

    /// The command that a byte stands for, where it stands for one.
    pub open spec fn spec_from_cid(cid: u8) -> Option<MacCommandCid> {
        if cid == 0x02 {
            Some(MacCommandCid::LinkCheck)
        } else if cid == 0x03 {
            Some(MacCommandCid::LinkAdr)
        } else if cid == 0x04 {
            Some(MacCommandCid::DutyCycle)
        } else if cid == 0x05 {
            Some(MacCommandCid::RxParamSetup)
        } else if cid == 0x06 {
            Some(MacCommandCid::DevStatus)
        } else if cid == 0x07 {
            Some(MacCommandCid::NewChannel)
        } else if cid == 0x08 {
            Some(MacCommandCid::RxTimingSetup)
        } else if cid == 0x09 {
            Some(MacCommandCid::TxParamSetup)
        } else if cid == 0x0A {
            Some(MacCommandCid::DlChannel)
        } else if cid == 0x0D {
            Some(MacCommandCid::DeviceTime)
        } else {
            None
        }
    }

    #[verifier::when_used_as_spec(spec_cid)]
    pub fn cid(&self) -> (cid: u8)
        ensures
            cid == self.spec_cid(),
            Self::spec_from_cid(cid) == Some(*self),
    {
        match *self {
            MacCommandCid::LinkCheck => 0x02,
            MacCommandCid::LinkAdr => 0x03,
            MacCommandCid::DutyCycle => 0x04,
            MacCommandCid::RxParamSetup => 0x05,
            MacCommandCid::DevStatus => 0x06,
            MacCommandCid::NewChannel => 0x07,
            MacCommandCid::RxTimingSetup => 0x08,
            MacCommandCid::TxParamSetup => 0x09,
            MacCommandCid::DlChannel => 0x0A,
            MacCommandCid::DeviceTime => 0x0D,
        }
    }

    pub fn from_cid(cid: u8) -> (r: Option<Self>)
        ensures
            r == Self::spec_from_cid(cid),
            r matches Some(c) ==> c.spec_cid() == cid,
    {
        match cid {
            0x02 => Some(MacCommandCid::LinkCheck),
            0x03 => Some(MacCommandCid::LinkAdr),
            0x04 => Some(MacCommandCid::DutyCycle),
            0x05 => Some(MacCommandCid::RxParamSetup),
            0x06 => Some(MacCommandCid::DevStatus),
            0x07 => Some(MacCommandCid::NewChannel),
            0x08 => Some(MacCommandCid::RxTimingSetup),
            0x09 => Some(MacCommandCid::TxParamSetup),
            0x0A => Some(MacCommandCid::DlChannel),
            0x0D => Some(MacCommandCid::DeviceTime),
            _ => None,
        }
    }
}

/// LinkCheckAns: the link margin in dB and the number of gateways that
/// received the request.
#[derive(Debug, Clone, Copy, PartialEq, Eq, Structural)]
pub struct LinkCheck {
    pub margin: u8,
    pub gw_count: u8,
}


/// LinkADRReq: the data rate in bits 0 to 3 and the TX power in bits 4 to 7 of the
/// first byte, then ChMask in two bytes, then a reserved bit, ChMaskCntl in bits
/// 1 to 3 and NbTrans in bits 4 to 7 of the last byte.
#[derive(Debug, Clone, Copy, PartialEq, Eq, Structural)]
pub struct LinkAdrReq {
    pub value: u32,
}

impl LinkAdrReq {
    pub open spec fn spec_data_rate(&self) -> u8 {
        (self.value % 16) as u8
    }

    pub open spec fn spec_tx_power(&self) -> u8 {
        ((self.value / 16) % 16) as u8
    }

    pub open spec fn spec_ch_mask(&self) -> u16 {
        ((self.value / 256) % 65536) as u16
    }

    pub open spec fn spec_rfu(&self) -> bool {
        (self.value / 16777216) % 2 == 1
    }

    pub open spec fn spec_channel_mask_ctrl(&self) -> u8 {
        ((self.value / 33554432) % 8) as u8
    }

    pub open spec fn spec_nb_trans(&self) -> u8 {
        (self.value / 268435456) as u8
    }

    /// The payload with all bits zero.
    pub fn new() -> (c: Self)
        ensures
            c.value == 0,
    {
        LinkAdrReq { value: 0 }
    }

    /// Reads the payload from its 4 bytes, the first of which is the least
    /// significant.
    pub fn from_bytes(bytes: [u8; 4]) -> (c: Self)
        ensures
            c.value == bytes[0] as int
                + 256 * (bytes[1] as int)
                + 65536 * (bytes[2] as int)
                + 16777216 * (bytes[3] as int),
    {
        LinkAdrReq {
            value: bytes[0] as u32
                + 256 * (bytes[1] as u32)
                + 65536 * (bytes[2] as u32)
                + 16777216 * (bytes[3] as u32),
        }
    }

    /// The 4 bytes of the payload, the first of which is the least significant.
    pub fn into_bytes(self) -> (bytes: [u8; 4])
        ensures
            bytes[0] == self.value % 256,
            bytes[1] == (self.value / 256) % 256,
            bytes[2] == (self.value / 65536) % 256,
            bytes[3] == (self.value / 16777216) % 256,
    {
        [
            (self.value % 256) as u8,
            ((self.value / 256) % 256) as u8,
            ((self.value / 65536) % 256) as u8,
            ((self.value / 16777216) % 256) as u8,
        ]
    }

    #[verifier::when_used_as_spec(spec_data_rate)]
    pub fn data_rate(&self) -> (v: u8)
        ensures
            v == self.spec_data_rate(),
            v < 16,
    {
        (self.value % 16) as u8
    }

    #[verifier::when_used_as_spec(spec_tx_power)]
    pub fn tx_power(&self) -> (v: u8)
        ensures
            v == self.spec_tx_power(),
            v < 16,
    {
        ((self.value / 16) % 16) as u8
    }

    #[verifier::when_used_as_spec(spec_ch_mask)]
    pub fn ch_mask(&self) -> (v: u16)
        ensures
            v == self.spec_ch_mask(),
    {
        ((self.value / 256) % 65536) as u16
    }

    #[verifier::when_used_as_spec(spec_rfu)]
    pub fn rfu(&self) -> (v: bool)
        ensures
            v == self.spec_rfu(),
    {
        (self.value / 16777216) % 2 == 1
    }

    #[verifier::when_used_as_spec(spec_channel_mask_ctrl)]
    pub fn channel_mask_ctrl(&self) -> (v: u8)
        ensures
            v == self.spec_channel_mask_ctrl(),
            v < 8,
    {
        ((self.value / 33554432) % 8) as u8
    }

    #[verifier::when_used_as_spec(spec_nb_trans)]
    pub fn nb_trans(&self) -> (v: u8)
        ensures
            v == self.spec_nb_trans(),
            v < 16,
    {
        (self.value / 268435456) as u8
    }
}

/// LinkADRAns: five reserved bits, then the power, data rate and channel mask
/// acknowledgments in bits 5, 6 and 7.
#[derive(Debug, Clone, Copy, PartialEq, Eq, Structural)]
pub struct LinkAdrAns {
    pub value: u8,
}

impl LinkAdrAns {
    pub open spec fn spec_rfu(&self) -> u8 {
        self.value % 32
    }

    pub open spec fn spec_power_ack(&self) -> bool {
        (self.value / 32) % 2 == 1
    }

    pub open spec fn spec_data_rate_ack(&self) -> bool {
        (self.value / 64) % 2 == 1
    }

    pub open spec fn spec_channel_mask_ack(&self) -> bool {
        self.value / 128 == 1
    }

    /// The payload with all bits zero.
    pub fn new() -> (c: Self)
        ensures
            c.value == 0,
    {
        LinkAdrAns { value: 0 }
    }

    pub fn from_bytes(bytes: [u8; 1]) -> (c: Self)
        ensures
            c.value == bytes[0],
    {
        LinkAdrAns { value: bytes[0] }
    }

    pub fn into_bytes(self) -> (bytes: [u8; 1])
        ensures
            bytes[0] == self.value,
    {
        [self.value]
    }

    #[verifier::when_used_as_spec(spec_rfu)]
    pub fn rfu(&self) -> (v: u8)
        ensures
            v == self.spec_rfu(),
            v < 32,
    {
        self.value % 32
    }

    #[verifier::when_used_as_spec(spec_power_ack)]
    pub fn power_ack(&self) -> (v: bool)
        ensures
            v == self.spec_power_ack(),
    {
        (self.value / 32) % 2 == 1
    }

    #[verifier::when_used_as_spec(spec_data_rate_ack)]
    pub fn data_rate_ack(&self) -> (v: bool)
        ensures
            v == self.spec_data_rate_ack(),
    {
        (self.value / 64) % 2 == 1
    }

    #[verifier::when_used_as_spec(spec_channel_mask_ack)]
    pub fn channel_mask_ack(&self) -> (v: bool)
        ensures
            v == self.spec_channel_mask_ack(),
    {
        self.value / 128 == 1
    }

    /// The payload with `power_ack` replaced.
    pub fn with_power_ack(self, power_ack: bool) -> (c: Self)
        ensures
            c.spec_power_ack() == power_ack,
            c.spec_rfu() == self.spec_rfu(),
            c.spec_data_rate_ack() == self.spec_data_rate_ack(),
            c.spec_channel_mask_ack() == self.spec_channel_mask_ack(),
    {
        let v: u8 = self.value;
        let bit: u8 = if power_ack {
            32
        } else {
            0
        };
        assert(((v / 32) % 2) * 32 <= v
            && v - ((v / 32) % 2) * 32 + bit <= 255
            && (v - ((v / 32) % 2) * 32 + bit) % 32 == (v) % 32
            && (((v - ((v / 32) % 2) * 32 + bit) / 32) % 2 == 1) == (bit == 32)
            && ((v - ((v / 32) % 2) * 32 + bit) / 64) % 2 == ((v) / 64) % 2
            && ((v - ((v / 32) % 2) * 32 + bit) / 128) == ((v) / 128)) by (bit_vector)
            requires
                bit == 0 || bit == 32,
        ;
        LinkAdrAns { value: v - ((v / 32) % 2) * 32 + bit }
    }

    /// The payload with `data_rate_ack` replaced.
    pub fn with_data_rate_ack(self, data_rate_ack: bool) -> (c: Self)
        ensures
            c.spec_data_rate_ack() == data_rate_ack,
            c.spec_rfu() == self.spec_rfu(),
            c.spec_power_ack() == self.spec_power_ack(),
            c.spec_channel_mask_ack() == self.spec_channel_mask_ack(),
    {
        let v: u8 = self.value;
        let bit: u8 = if data_rate_ack {
            64
        } else {
            0
        };
        assert(((v / 64) % 2) * 64 <= v
            && v - ((v / 64) % 2) * 64 + bit <= 255
            && (v - ((v / 64) % 2) * 64 + bit) % 32 == (v) % 32
            && ((v - ((v / 64) % 2) * 64 + bit) / 32) % 2 == ((v) / 32) % 2
            && (((v - ((v / 64) % 2) * 64 + bit) / 64) % 2 == 1) == (bit == 64)
            && ((v - ((v / 64) % 2) * 64 + bit) / 128) == ((v) / 128)) by (bit_vector)
            requires
                bit == 0 || bit == 64,
        ;
        LinkAdrAns { value: v - ((v / 64) % 2) * 64 + bit }
    }

    /// The payload with `channel_mask_ack` replaced.
    pub fn with_channel_mask_ack(self, channel_mask_ack: bool) -> (c: Self)
        ensures
            c.spec_channel_mask_ack() == channel_mask_ack,
            c.spec_rfu() == self.spec_rfu(),
            c.spec_power_ack() == self.spec_power_ack(),
            c.spec_data_rate_ack() == self.spec_data_rate_ack(),
    {
        let v: u8 = self.value;
        let bit: u8 = if channel_mask_ack {
            128
        } else {
            0
        };
        assert((v / 128) * 128 <= v
            && v - (v / 128) * 128 + bit <= 255
            && (v - (v / 128) * 128 + bit) % 32 == (v) % 32
            && ((v - (v / 128) * 128 + bit) / 32) % 2 == ((v) / 32) % 2
            && ((v - (v / 128) * 128 + bit) / 64) % 2 == ((v) / 64) % 2
            && (((v - (v / 128) * 128 + bit) / 128) == 1) == (bit == 128)) by (bit_vector)
            requires
                bit == 0 || bit == 128,
        ;
        LinkAdrAns { value: v - (v / 128) * 128 + bit }
    }
}

/// DutyCycleReq: four reserved bits, then MaxDutyCycle in bits 4 to 7.
#[derive(Debug, Clone, Copy, PartialEq, Eq, Structural)]
pub struct DutyCycleReq {
    pub value: u8,
}

impl DutyCycleReq {
    pub open spec fn spec_rfu(&self) -> u8 {
        self.value % 16
    }

    pub open spec fn spec_max_duty_cycle(&self) -> u8 {
        self.value / 16
    }

    /// The payload with all bits zero.
    pub fn new() -> (c: Self)
        ensures
            c.value == 0,
    {
        DutyCycleReq { value: 0 }
    }

    pub fn from_bytes(bytes: [u8; 1]) -> (c: Self)
        ensures
            c.value == bytes[0],
    {
        DutyCycleReq { value: bytes[0] }
    }

    pub fn into_bytes(self) -> (bytes: [u8; 1])
        ensures
            bytes[0] == self.value,
    {
        [self.value]
    }

    #[verifier::when_used_as_spec(spec_rfu)]
    pub fn rfu(&self) -> (v: u8)
        ensures
            v == self.spec_rfu(),
            v < 16,
    {
        self.value % 16
    }

    #[verifier::when_used_as_spec(spec_max_duty_cycle)]
    pub fn max_duty_cycle(&self) -> (v: u8)
        ensures
            v == self.spec_max_duty_cycle(),
            v < 16,
    {
        self.value / 16
    }
}

/// DLSettings of a RXParamSetupReq: a reserved bit, the RX1 data rate offset in
/// bits 1 to 3, the RX2 data rate in bits 4 to 7.
#[derive(Debug, Clone, Copy, PartialEq, Eq, Structural)]
pub struct RxParamSetupReq {
    pub value: u8,
}

impl RxParamSetupReq {
    pub open spec fn spec_rfu(&self) -> bool {
        self.value % 2 == 1
    }

    pub open spec fn spec_rx1_data_rate_offset(&self) -> u8 {
        (self.value / 2) % 8
    }

    pub open spec fn spec_rx2_data_rate(&self) -> u8 {
        self.value / 16
    }

    /// The payload with all bits zero.
    pub fn new() -> (c: Self)
        ensures
            c.value == 0,
    {
        RxParamSetupReq { value: 0 }
    }

    pub fn from_bytes(bytes: [u8; 1]) -> (c: Self)
        ensures
            c.value == bytes[0],
    {
        RxParamSetupReq { value: bytes[0] }
    }

    pub fn into_bytes(self) -> (bytes: [u8; 1])
        ensures
            bytes[0] == self.value,
    {
        [self.value]
    }

    #[verifier::when_used_as_spec(spec_rfu)]
    pub fn rfu(&self) -> (v: bool)
        ensures
            v == self.spec_rfu(),
    {
        self.value % 2 == 1
    }

    #[verifier::when_used_as_spec(spec_rx1_data_rate_offset)]
    pub fn rx1_data_rate_offset(&self) -> (v: u8)
        ensures
            v == self.spec_rx1_data_rate_offset(),
            v < 8,
    {
        (self.value / 2) % 8
    }

    #[verifier::when_used_as_spec(spec_rx2_data_rate)]
    pub fn rx2_data_rate(&self) -> (v: u8)
        ensures
            v == self.spec_rx2_data_rate(),
            v < 16,
    {
        self.value / 16
    }
}

/// RXParamSetupAns: five reserved bits, then the RX1 data rate offset, RX2 data
/// rate and channel acknowledgments in bits 5, 6 and 7.
#[derive(Debug, Clone, Copy, PartialEq, Eq, Structural)]
pub struct RxParamSetupAns {
    pub value: u8,
}

impl RxParamSetupAns {
    pub open spec fn spec_rfu(&self) -> u8 {
        self.value % 32
    }

    pub open spec fn spec_rx1_data_rate_offset_ack(&self) -> bool {
        (self.value / 32) % 2 == 1
    }

    pub open spec fn spec_rx2_data_rate_ack(&self) -> bool {
        (self.value / 64) % 2 == 1
    }

    pub open spec fn spec_channel_ack(&self) -> bool {
        self.value / 128 == 1
    }

    /// The payload with all bits zero.
    pub fn new() -> (c: Self)
        ensures
            c.value == 0,
    {
        RxParamSetupAns { value: 0 }
    }

    pub fn from_bytes(bytes: [u8; 1]) -> (c: Self)
        ensures
            c.value == bytes[0],
    {
        RxParamSetupAns { value: bytes[0] }
    }

    pub fn into_bytes(self) -> (bytes: [u8; 1])
        ensures
            bytes[0] == self.value,
    {
        [self.value]
    }

    #[verifier::when_used_as_spec(spec_rfu)]
    pub fn rfu(&self) -> (v: u8)
        ensures
            v == self.spec_rfu(),
            v < 32,
    {
        self.value % 32
    }

    #[verifier::when_used_as_spec(spec_rx1_data_rate_offset_ack)]
    pub fn rx1_data_rate_offset_ack(&self) -> (v: bool)
        ensures
            v == self.spec_rx1_data_rate_offset_ack(),
    {
        (self.value / 32) % 2 == 1
    }

    #[verifier::when_used_as_spec(spec_rx2_data_rate_ack)]
    pub fn rx2_data_rate_ack(&self) -> (v: bool)
        ensures
            v == self.spec_rx2_data_rate_ack(),
    {
        (self.value / 64) % 2 == 1
    }

    #[verifier::when_used_as_spec(spec_channel_ack)]
    pub fn channel_ack(&self) -> (v: bool)
        ensures
            v == self.spec_channel_ack(),
    {
        self.value / 128 == 1
    }
}

/// DevStatusAns: the battery level in the first byte; in the second three
/// reserved bits, then the SNR in bits 3 to 7.
#[derive(Debug, Clone, Copy, PartialEq, Eq, Structural)]
pub struct DevStatusAns {
    pub value: u16,
}

impl DevStatusAns {
    pub open spec fn spec_battery(&self) -> u8 {
        (self.value % 256) as u8
    }

    pub open spec fn spec_rfu(&self) -> u8 {
        ((self.value / 256) % 8) as u8
    }

    pub open spec fn spec_snr(&self) -> u8 {
        (self.value / 2048) as u8
    }

    /// The payload with all bits zero.
    pub fn new() -> (c: Self)
        ensures
            c.value == 0,
    {
        DevStatusAns { value: 0 }
    }

    /// Reads the payload from its 2 bytes, the first of which is the least
    /// significant.
    pub fn from_bytes(bytes: [u8; 2]) -> (c: Self)
        ensures
            c.value == bytes[0] as int
                + 256 * (bytes[1] as int),
    {
        DevStatusAns {
            value: bytes[0] as u16
                + 256 * (bytes[1] as u16),
        }
    }

    /// The 2 bytes of the payload, the first of which is the least significant.
    pub fn into_bytes(self) -> (bytes: [u8; 2])
        ensures
            bytes[0] == self.value % 256,
            bytes[1] == (self.value / 256) % 256,
    {
        [
            (self.value % 256) as u8,
            ((self.value / 256) % 256) as u8,
        ]
    }

    #[verifier::when_used_as_spec(spec_battery)]
    pub fn battery(&self) -> (v: u8)
        ensures
            v == self.spec_battery(),
    {
        (self.value % 256) as u8
    }

    #[verifier::when_used_as_spec(spec_rfu)]
    pub fn rfu(&self) -> (v: u8)
        ensures
            v == self.spec_rfu(),
            v < 8,
    {
        ((self.value / 256) % 8) as u8
    }

    #[verifier::when_used_as_spec(spec_snr)]
    pub fn snr(&self) -> (v: u8)
        ensures
            v == self.spec_snr(),
            v < 32,
    {
        (self.value / 2048) as u8
    }
}

/// NewChannelReq: the channel index in the first byte, the frequency in three
/// bytes, then the maximum data rate in bits 0 to 3 and the minimum data rate
/// in bits 4 to 7 of the last byte.
#[derive(Debug, Clone, Copy, PartialEq, Eq, Structural)]
pub struct NewChannelReq {
    pub value: u64,
}

impl NewChannelReq {
    pub open spec fn spec_channel_index(&self) -> u8 {
        (self.value % 256) as u8
    }

    pub open spec fn spec_frequency(&self) -> u32 {
        ((self.value / 256) % 16777216) as u32
    }

    pub open spec fn spec_max_data_rate(&self) -> u8 {
        ((self.value / 4294967296) % 16) as u8
    }

    pub open spec fn spec_min_data_rate(&self) -> u8 {
        ((self.value / 68719476736) % 16) as u8
    }

    /// The payload with all bits zero.
    pub fn new() -> (c: Self)
        ensures
            c.value == 0,
    {
        NewChannelReq { value: 0 }
    }

    /// Reads the payload from its 5 bytes, the first of which is the least
    /// significant.
    pub fn from_bytes(bytes: [u8; 5]) -> (c: Self)
        ensures
            c.value == bytes[0] as int
                + 256 * (bytes[1] as int)
                + 65536 * (bytes[2] as int)
                + 16777216 * (bytes[3] as int)
                + 4294967296 * (bytes[4] as int),
    {
        NewChannelReq {
            value: bytes[0] as u64
                + 256 * (bytes[1] as u64)
                + 65536 * (bytes[2] as u64)
                + 16777216 * (bytes[3] as u64)
                + 4294967296 * (bytes[4] as u64),
        }
    }

    /// The 5 bytes of the payload, the first of which is the least significant.
    pub fn into_bytes(self) -> (bytes: [u8; 5])
        ensures
            bytes[0] == self.value % 256,
            bytes[1] == (self.value / 256) % 256,
            bytes[2] == (self.value / 65536) % 256,
            bytes[3] == (self.value / 16777216) % 256,
            bytes[4] == (self.value / 4294967296) % 256,
    {
        [
            (self.value % 256) as u8,
            ((self.value / 256) % 256) as u8,
            ((self.value / 65536) % 256) as u8,
            ((self.value / 16777216) % 256) as u8,
            ((self.value / 4294967296) % 256) as u8,
        ]
    }

    #[verifier::when_used_as_spec(spec_channel_index)]
    pub fn channel_index(&self) -> (v: u8)
        ensures
            v == self.spec_channel_index(),
    {
        (self.value % 256) as u8
    }

    #[verifier::when_used_as_spec(spec_frequency)]
    pub fn frequency(&self) -> (v: u32)
        ensures
            v == self.spec_frequency(),
            v < 16777216,
    {
        ((self.value / 256) % 16777216) as u32
    }

    #[verifier::when_used_as_spec(spec_max_data_rate)]
    pub fn max_data_rate(&self) -> (v: u8)
        ensures
            v == self.spec_max_data_rate(),
            v < 16,
    {
        ((self.value / 4294967296) % 16) as u8
    }

    #[verifier::when_used_as_spec(spec_min_data_rate)]
    pub fn min_data_rate(&self) -> (v: u8)
        ensures
            v == self.spec_min_data_rate(),
            v < 16,
    {
        ((self.value / 68719476736) % 16) as u8
    }
}

/// NewChannelAns: six reserved bits, then "data rate range ok" in bit 6 and
/// "channel frequency ok" in bit 7.
#[derive(Debug, Clone, Copy, PartialEq, Eq, Structural)]
pub struct NewChannelAns {
    pub value: u8,
}

impl NewChannelAns {
    pub open spec fn spec_rfu(&self) -> u8 {
        self.value % 64
    }

    pub open spec fn spec_data_rate_range_ok(&self) -> bool {
        (self.value / 64) % 2 == 1
    }

    pub open spec fn spec_channel_frequency_ok(&self) -> bool {
        self.value / 128 == 1
    }

    /// The payload with all bits zero.
    pub fn new() -> (c: Self)
        ensures
            c.value == 0,
    {
        NewChannelAns { value: 0 }
    }

    pub fn from_bytes(bytes: [u8; 1]) -> (c: Self)
        ensures
            c.value == bytes[0],
    {
        NewChannelAns { value: bytes[0] }
    }

    pub fn into_bytes(self) -> (bytes: [u8; 1])
        ensures
            bytes[0] == self.value,
    {
        [self.value]
    }

    #[verifier::when_used_as_spec(spec_rfu)]
    pub fn rfu(&self) -> (v: u8)
        ensures
            v == self.spec_rfu(),
            v < 64,
    {
        self.value % 64
    }

    #[verifier::when_used_as_spec(spec_data_rate_range_ok)]
    pub fn data_rate_range_ok(&self) -> (v: bool)
        ensures
            v == self.spec_data_rate_range_ok(),
    {
        (self.value / 64) % 2 == 1
    }

    #[verifier::when_used_as_spec(spec_channel_frequency_ok)]
    pub fn channel_frequency_ok(&self) -> (v: bool)
        ensures
            v == self.spec_channel_frequency_ok(),
    {
        self.value / 128 == 1
    }
}

/// DlChannelReq: the channel index in the first byte, the frequency in three
/// bytes.
#[derive(Debug, Clone, Copy, PartialEq, Eq, Structural)]
pub struct DlChannelReq {
    pub value: u32,
}

impl DlChannelReq {
    pub open spec fn spec_channel_index(&self) -> u8 {
        (self.value % 256) as u8
    }

    pub open spec fn spec_frequency(&self) -> u32 {
        self.value / 256
    }

    /// The payload with all bits zero.
    pub fn new() -> (c: Self)
        ensures
            c.value == 0,
    {
        DlChannelReq { value: 0 }
    }

    /// Reads the payload from its 4 bytes, the first of which is the least
    /// significant.
    pub fn from_bytes(bytes: [u8; 4]) -> (c: Self)
        ensures
            c.value == bytes[0] as int
                + 256 * (bytes[1] as int)
                + 65536 * (bytes[2] as int)
                + 16777216 * (bytes[3] as int),
    {
        DlChannelReq {
            value: bytes[0] as u32
                + 256 * (bytes[1] as u32)
                + 65536 * (bytes[2] as u32)
                + 16777216 * (bytes[3] as u32),
        }
    }

    /// The 4 bytes of the payload, the first of which is the least significant.
    pub fn into_bytes(self) -> (bytes: [u8; 4])
        ensures
            bytes[0] == self.value % 256,
            bytes[1] == (self.value / 256) % 256,
            bytes[2] == (self.value / 65536) % 256,
            bytes[3] == (self.value / 16777216) % 256,
    {
        [
            (self.value % 256) as u8,
            ((self.value / 256) % 256) as u8,
            ((self.value / 65536) % 256) as u8,
            ((self.value / 16777216) % 256) as u8,
        ]
    }

    #[verifier::when_used_as_spec(spec_channel_index)]
    pub fn channel_index(&self) -> (v: u8)
        ensures
            v == self.spec_channel_index(),
    {
        (self.value % 256) as u8
    }

    #[verifier::when_used_as_spec(spec_frequency)]
    pub fn frequency(&self) -> (v: u32)
        ensures
            v == self.spec_frequency(),
            v < 16777216,
    {
        self.value / 256
    }
}

/// DlChannelAns: six reserved bits, then "uplink frequency exists" in bit 6 and
/// "channel frequency ok" in bit 7.
#[derive(Debug, Clone, Copy, PartialEq, Eq, Structural)]
pub struct DlChannelAns {
    pub value: u8,
}

impl DlChannelAns {
    pub open spec fn spec_rfu(&self) -> u8 {
        self.value % 64
    }

    pub open spec fn spec_uplink_frequency_exists(&self) -> bool {
        (self.value / 64) % 2 == 1
    }

    pub open spec fn spec_channel_frequency_ok(&self) -> bool {
        self.value / 128 == 1
    }

    /// The payload with all bits zero.
    pub fn new() -> (c: Self)
        ensures
            c.value == 0,
    {
        DlChannelAns { value: 0 }
    }

    pub fn from_bytes(bytes: [u8; 1]) -> (c: Self)
        ensures
            c.value == bytes[0],
    {
        DlChannelAns { value: bytes[0] }
    }

    pub fn into_bytes(self) -> (bytes: [u8; 1])
        ensures
            bytes[0] == self.value,
    {
        [self.value]
    }

    #[verifier::when_used_as_spec(spec_rfu)]
    pub fn rfu(&self) -> (v: u8)
        ensures
            v == self.spec_rfu(),
            v < 64,
    {
        self.value % 64
    }

    #[verifier::when_used_as_spec(spec_uplink_frequency_exists)]
    pub fn uplink_frequency_exists(&self) -> (v: bool)
        ensures
            v == self.spec_uplink_frequency_exists(),
    {
        (self.value / 64) % 2 == 1
    }

    #[verifier::when_used_as_spec(spec_channel_frequency_ok)]
    pub fn channel_frequency_ok(&self) -> (v: bool)
        ensures
            v == self.spec_channel_frequency_ok(),
    {
        self.value / 128 == 1
    }
}

/// RXTimingSetupReq: five reserved bits, then the delay in seconds in bits 5 to
/// 7.
#[derive(Debug, Clone, Copy, PartialEq, Eq, Structural)]
pub struct RxTimingSetupReq {
    pub value: u8,
}

impl RxTimingSetupReq {
    pub open spec fn spec_rfu(&self) -> u8 {
        self.value % 32
    }

    pub open spec fn spec_delay_seconds(&self) -> u8 {
        self.value / 32
    }

    /// The payload with all bits zero.
    pub fn new() -> (c: Self)
        ensures
            c.value == 0,
    {
        RxTimingSetupReq { value: 0 }
    }

    pub fn from_bytes(bytes: [u8; 1]) -> (c: Self)
        ensures
            c.value == bytes[0],
    {
        RxTimingSetupReq { value: bytes[0] }
    }

    pub fn into_bytes(self) -> (bytes: [u8; 1])
        ensures
            bytes[0] == self.value,
    {
        [self.value]
    }

    #[verifier::when_used_as_spec(spec_rfu)]
    pub fn rfu(&self) -> (v: u8)
        ensures
            v == self.spec_rfu(),
            v < 32,
    {
        self.value % 32
    }

    #[verifier::when_used_as_spec(spec_delay_seconds)]
    pub fn delay_seconds(&self) -> (v: u8)
        ensures
            v == self.spec_delay_seconds(),
            v < 8,
    {
        self.value / 32
    }
}

/// TxParamSetupReq: two reserved bits, the downlink dwell time in bit 2, the
/// uplink dwell time in bit 3, then MaxEIRP in bits 4 to 7.
#[derive(Debug, Clone, Copy, PartialEq, Eq, Structural)]
pub struct TxParamSetup {
    pub value: u8,
}

impl TxParamSetup {
    pub open spec fn spec_rfu(&self) -> u8 {
        self.value % 4
    }

    pub open spec fn spec_downlink_dwell_time(&self) -> bool {
        (self.value / 4) % 2 == 1
    }

    pub open spec fn spec_uplink_dwell_time(&self) -> bool {
        (self.value / 8) % 2 == 1
    }

    pub open spec fn spec_max_eirp(&self) -> u8 {
        self.value / 16
    }

    /// The payload with all bits zero.
    pub fn new() -> (c: Self)
        ensures
            c.value == 0,
    {
        TxParamSetup { value: 0 }
    }

    pub fn from_bytes(bytes: [u8; 1]) -> (c: Self)
        ensures
            c.value == bytes[0],
    {
        TxParamSetup { value: bytes[0] }
    }

    pub fn into_bytes(self) -> (bytes: [u8; 1])
        ensures
            bytes[0] == self.value,
    {
        [self.value]
    }

    #[verifier::when_used_as_spec(spec_rfu)]
    pub fn rfu(&self) -> (v: u8)
        ensures
            v == self.spec_rfu(),
            v < 4,
    {
        self.value % 4
    }

    #[verifier::when_used_as_spec(spec_downlink_dwell_time)]
    pub fn downlink_dwell_time(&self) -> (v: bool)
        ensures
            v == self.spec_downlink_dwell_time(),
    {
        (self.value / 4) % 2 == 1
    }

    #[verifier::when_used_as_spec(spec_uplink_dwell_time)]
    pub fn uplink_dwell_time(&self) -> (v: bool)
        ensures
            v == self.spec_uplink_dwell_time(),
    {
        (self.value / 8) % 2 == 1
    }

    #[verifier::when_used_as_spec(spec_max_eirp)]
    pub fn max_eirp(&self) -> (v: u8)
        ensures
            v == self.spec_max_eirp(),
            v < 16,
    {
        self.value / 16
    }
}

/// DeviceTimeAns: the seconds since the GPS epoch in four bytes, then the
/// fraction of a second in steps of 1/256.
#[derive(Debug, Clone, Copy, PartialEq, Eq, Structural)]
pub struct DeviceTimeAns {
    pub value: u64,
}

impl DeviceTimeAns {
    pub open spec fn spec_seconds_since_epoch(&self) -> u32 {
        (self.value % 4294967296) as u32
    }

    pub open spec fn spec_fraction_seconds(&self) -> u8 {
        ((self.value / 4294967296) % 256) as u8
    }

    /// The payload with all bits zero.
    pub fn new() -> (c: Self)
        ensures
            c.value == 0,
    {
        DeviceTimeAns { value: 0 }
    }

    /// Reads the payload from its 5 bytes, the first of which is the least
    /// significant.
    pub fn from_bytes(bytes: [u8; 5]) -> (c: Self)
        ensures
            c.value == bytes[0] as int
                + 256 * (bytes[1] as int)
                + 65536 * (bytes[2] as int)
                + 16777216 * (bytes[3] as int)
                + 4294967296 * (bytes[4] as int),
    {
        DeviceTimeAns {
            value: bytes[0] as u64
                + 256 * (bytes[1] as u64)
                + 65536 * (bytes[2] as u64)
                + 16777216 * (bytes[3] as u64)
                + 4294967296 * (bytes[4] as u64),
        }
    }

    /// The 5 bytes of the payload, the first of which is the least significant.
    pub fn into_bytes(self) -> (bytes: [u8; 5])
        ensures
            bytes[0] == self.value % 256,
            bytes[1] == (self.value / 256) % 256,
            bytes[2] == (self.value / 65536) % 256,
            bytes[3] == (self.value / 16777216) % 256,
            bytes[4] == (self.value / 4294967296) % 256,
    {
        [
            (self.value % 256) as u8,
            ((self.value / 256) % 256) as u8,
            ((self.value / 65536) % 256) as u8,
            ((self.value / 16777216) % 256) as u8,
            ((self.value / 4294967296) % 256) as u8,
        ]
    }

    #[verifier::when_used_as_spec(spec_seconds_since_epoch)]
    pub fn seconds_since_epoch(&self) -> (v: u32)
        ensures
            v == self.spec_seconds_since_epoch(),
    {
        (self.value % 4294967296) as u32
    }

    #[verifier::when_used_as_spec(spec_fraction_seconds)]
    pub fn fraction_seconds(&self) -> (v: u8)
        ensures
            v == self.spec_fraction_seconds(),
    {
        ((self.value / 4294967296) % 256) as u8
    }
}

/// A request that a network server sends to an end-device.
#[derive(Debug, Clone, Copy, PartialEq, Eq, Structural)]
pub enum ReqFromNetworkServer {
    LinkAdr(LinkAdrReq),
    DutyCycle(DutyCycleReq),
    RxParamSetup(RxParamSetupReq),
    DevStatus,
    NewChannel(NewChannelReq),
    RxTimingSetup(RxTimingSetupReq),
    TxParamSetup(TxParamSetup),
    DlChannel(DlChannelReq),
}

impl ReqFromNetworkServer {
    /// The identifier of the command.
    pub fn cid(&self) -> (cid: MacCommandCid)
        ensures
            cid == match *self {
                ReqFromNetworkServer::LinkAdr(_) => MacCommandCid::LinkAdr,
                ReqFromNetworkServer::DutyCycle(_) => MacCommandCid::DutyCycle,
                ReqFromNetworkServer::RxParamSetup(_) => MacCommandCid::RxParamSetup,
                ReqFromNetworkServer::DevStatus => MacCommandCid::DevStatus,
                ReqFromNetworkServer::NewChannel(_) => MacCommandCid::NewChannel,
                ReqFromNetworkServer::RxTimingSetup(_) => MacCommandCid::RxTimingSetup,
                ReqFromNetworkServer::TxParamSetup(_) => MacCommandCid::TxParamSetup,
                ReqFromNetworkServer::DlChannel(_) => MacCommandCid::DlChannel,
            },
    {
        match *self {
            ReqFromNetworkServer::LinkAdr(_) => MacCommandCid::LinkAdr,
            ReqFromNetworkServer::DutyCycle(_) => MacCommandCid::DutyCycle,
            ReqFromNetworkServer::RxParamSetup(_) => MacCommandCid::RxParamSetup,
            ReqFromNetworkServer::DevStatus => MacCommandCid::DevStatus,
            ReqFromNetworkServer::NewChannel(_) => MacCommandCid::NewChannel,
            ReqFromNetworkServer::RxTimingSetup(_) => MacCommandCid::RxTimingSetup,
            ReqFromNetworkServer::TxParamSetup(_) => MacCommandCid::TxParamSetup,
            ReqFromNetworkServer::DlChannel(_) => MacCommandCid::DlChannel,
        }
    }
}

/// An answer that an end-device sends to a network server.
#[derive(Debug, Clone, Copy, PartialEq, Eq, Structural)]
pub enum AnsFromEndDevice {
    LinkAdr(LinkAdrAns),
    DutyCycle,
    RxParamSetup(RxParamSetupAns),
    DevStatus(DevStatusAns),
    NewChannel(NewChannelAns),
    RxTimingSetup,
    TxParamSetup,
    DlChannel(DlChannelAns),
}

impl AnsFromEndDevice {
    /// The identifier of the command.
    pub open spec fn spec_cid(&self) -> MacCommandCid {
        match *self {
            AnsFromEndDevice::LinkAdr(_) => MacCommandCid::LinkAdr,
            AnsFromEndDevice::DutyCycle => MacCommandCid::DutyCycle,
            AnsFromEndDevice::RxParamSetup(_) => MacCommandCid::RxParamSetup,
            AnsFromEndDevice::DevStatus(_) => MacCommandCid::DevStatus,
            AnsFromEndDevice::NewChannel(_) => MacCommandCid::NewChannel,
            AnsFromEndDevice::RxTimingSetup => MacCommandCid::RxTimingSetup,
            AnsFromEndDevice::TxParamSetup => MacCommandCid::TxParamSetup,
            AnsFromEndDevice::DlChannel(_) => MacCommandCid::DlChannel,
        }
    }

    /// The bytes of the payload that follows the identifier.
    pub open spec fn spec_payload(&self) -> Seq<u8> {
        match *self {
            AnsFromEndDevice::LinkAdr(ans) => seq![ans.value],
            AnsFromEndDevice::RxParamSetup(ans) => seq![ans.value],
            AnsFromEndDevice::DevStatus(ans) => seq![
                (ans.value % 256) as u8,
                ((ans.value / 256) % 256) as u8,
            ],
            AnsFromEndDevice::NewChannel(ans) => seq![ans.value],
            AnsFromEndDevice::DlChannel(ans) => seq![ans.value],
            _ => Seq::empty(),
        }
    }

    #[verifier::when_used_as_spec(spec_cid)]
    pub fn cid(&self) -> (cid: MacCommandCid)
        ensures
            cid == self.spec_cid(),
    {
        match *self {
            AnsFromEndDevice::LinkAdr(_) => MacCommandCid::LinkAdr,
            AnsFromEndDevice::DutyCycle => MacCommandCid::DutyCycle,
            AnsFromEndDevice::RxParamSetup(_) => MacCommandCid::RxParamSetup,
            AnsFromEndDevice::DevStatus(_) => MacCommandCid::DevStatus,
            AnsFromEndDevice::NewChannel(_) => MacCommandCid::NewChannel,
            AnsFromEndDevice::RxTimingSetup => MacCommandCid::RxTimingSetup,
            AnsFromEndDevice::TxParamSetup => MacCommandCid::TxParamSetup,
            AnsFromEndDevice::DlChannel(_) => MacCommandCid::DlChannel,
        }
    }

    /// The answer as a MAC command: its identifier, then its payload.
    pub fn to_bytes(&self) -> (bytes: Vec<u8>)
        ensures
            bytes@ == seq![self.spec_cid().spec_cid()] + self.spec_payload(),
    {
        let mut bytes: Vec<u8> = Vec::new();
        bytes.push(self.cid().cid());
        match *self {
            AnsFromEndDevice::LinkAdr(ans) => bytes.push(ans.into_bytes()[0]),
            AnsFromEndDevice::RxParamSetup(ans) => bytes.push(ans.into_bytes()[0]),
            AnsFromEndDevice::DevStatus(ans) => {
                let payload: [u8; 2] = ans.into_bytes();
                bytes.push(payload[0]);
                bytes.push(payload[1]);
            },
            AnsFromEndDevice::NewChannel(ans) => bytes.push(ans.into_bytes()[0]),
            AnsFromEndDevice::DlChannel(ans) => bytes.push(ans.into_bytes()[0]),
            _ => {},
        }
        assert(bytes@ =~= seq![self.spec_cid().spec_cid()] + self.spec_payload());
        bytes
    }
}

/// A request that an end-device sends to a network server.
#[derive(Debug, Clone, Copy, PartialEq, Eq, Structural)]
pub enum ReqFromEndDevice {
    LinkCheck,
}

/// An answer that a network server sends to an end-device.
#[derive(Debug, Clone, Copy, PartialEq, Eq, Structural)]
pub enum AnsFromNetworkServer {
    LinkCheck(LinkCheck),
}

impl AnsFromNetworkServer {
    /// The answer as a MAC command: its identifier, then its payload.
    pub fn to_bytes(&self) -> (bytes: Vec<u8>)
        ensures
            bytes@ == match *self {
                AnsFromNetworkServer::LinkCheck(ans) => seq![0x02u8, ans.margin, ans.gw_count],
            },
    {
        match *self {
            AnsFromNetworkServer::LinkCheck(ans) => {
                let mut bytes: Vec<u8> = Vec::new();
                bytes.push(MacCommandCid::LinkCheck.cid());
                bytes.push(ans.margin);
                bytes.push(ans.gw_count);
                assert(bytes@ =~= seq![0x02u8, ans.margin, ans.gw_count]);
                bytes
            },
        }
    }
}

} // verus!
